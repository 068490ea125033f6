use kvm_bindings::CpuId;
use vstd::prelude::*;

verus! {

/// A table of CPUID leaves for KVM (`CpuId` of `kvm_bindings`).
#[verifier::external_body]
pub struct CpuIdTable {
    pub table: CpuId,
}

/// The most leaves a CPUID table for KVM holds (`KVM_MAX_CPUID_ENTRIES`).
pub const KVM_MAX_CPUID_ENTRIES: usize = 256;

/// A CPUID leaf as `(function, index, flags, eax, ebx, ecx, edx)`.
pub type CpuIdLeaf = (u32, u32, u32, u32, u32, u32, u32);

/// The leaves that a CPUID table holds, in order.
pub uninterp spec fn cpuid_leaves(table: CpuIdTable) -> Seq<(u32, u32, u32, u32, u32, u32, u32)>;

/// `Clone::clone` of `FamStructWrapper` in `vmm_sys_util`: a table with the same leaves.
#[verifier::external_body]
fn clone_cpuid(table: &CpuIdTable) -> (r: CpuIdTable)
    ensures
        cpuid_leaves(r) == cpuid_leaves(*table),
{
    CpuIdTable { table: table.table.clone() }
}

/// `FamStructWrapper::as_slice` of `vmm_sys_util`: leaf `i` of the table, if it has one (a table
/// holds at most `KVM_MAX_CPUID_ENTRIES` leaves).
#[verifier::external_body]
fn cpuid_leaf(table: &CpuIdTable, i: usize) -> (r: Option<(u32, u32, u32, u32, u32, u32, u32)>)
    ensures
        i < cpuid_leaves(*table).len() ==> r == Some(cpuid_leaves(*table)[i as int]),
        i >= cpuid_leaves(*table).len() ==> r is None,
        r is Some ==> i < KVM_MAX_CPUID_ENTRIES,
{
    table.table.as_slice().get(i).map(|e| (e.function, e.index, e.flags, e.eax, e.ebx, e.ecx, e.edx))
}

/// `FamStructWrapper::as_mut_slice` of `vmm_sys_util`: writes leaf `i` of the table.
#[verifier::external_body]
fn set_cpuid_leaf(table: &mut CpuIdTable, i: usize, leaf: (u32, u32, u32, u32, u32, u32, u32))
    requires
        i < cpuid_leaves(*old(table)).len(),
    ensures
        cpuid_leaves(*final(table)) == cpuid_leaves(*old(table)).update(i as int, leaf),
{
    let e = &mut table.table.as_mut_slice()[i];
    e.function = leaf.0;
    e.index = leaf.1;
    e.flags = leaf.2;
    e.eax = leaf.3;
    e.ebx = leaf.4;
    e.ecx = leaf.5;
    e.edx = leaf.6;
}

/// Leaf `0x01` with its initial APIC id (bits 24..32 of `ebx`) set to `vcpu_id`.
pub open spec fn with_apic_id(leaf: CpuIdLeaf, vcpu_id: u8) -> CpuIdLeaf {
    if leaf.0 == 0x01 {
        (leaf.0, leaf.1, leaf.2, leaf.3, (leaf.4 & 0xffffff) | ((vcpu_id as u32) << 24u32), leaf.5, leaf.6)
    } else {
        leaf
    }
}

/// Leaf `0x01`, index 0, with the hypervisor bit (bit 31 of `ecx`) set.
pub open spec fn with_hypervisor_bit(leaf: CpuIdLeaf) -> CpuIdLeaf {
    if leaf.0 == 0x01 && leaf.1 == 0 {
        (leaf.0, leaf.1, leaf.2, leaf.3, leaf.4, leaf.5 | (1u32 << 31u32), leaf.6)
    } else {
        leaf
    }
}

/// What giving a leaf the initial APIC id `vcpu_id` does: leaf `0x01` gets `vcpu_id` in bits
/// 24..32 of `ebx` and keeps bits 0..24 of `ebx` and every other word; any other leaf is kept.
pub proof fn lemma_apic_id_fields(leaf: CpuIdLeaf, vcpu_id: u8)
    ensures
        leaf.0 == 0x01 ==> {
            let r = with_apic_id(leaf, vcpu_id);
            &&& r.4 >> 24u32 == vcpu_id as u32
            &&& r.4 & 0xffffff == leaf.4 & 0xffffff
            &&& r.0 == leaf.0 && r.1 == leaf.1 && r.2 == leaf.2 && r.3 == leaf.3
            &&& r.5 == leaf.5 && r.6 == leaf.6
        },
        leaf.0 != 0x01 ==> with_apic_id(leaf, vcpu_id) == leaf,
{
    let ebx = leaf.4;
    let id = vcpu_id as u32;
    assert(id < 256);
    assert(((ebx & 0xffffff) | (id << 24u32)) >> 24u32 == id) by (bit_vector)
        requires
            id < 256,
    ;
    assert(((ebx & 0xffffff) | (id << 24u32)) & 0xffffff == ebx & 0xffffff) by (bit_vector);
}

/// What setting the hypervisor bit does: leaf `0x01` index 0 gets bit 31 of `ecx` set and keeps
/// every other bit and word; any other leaf is kept.
pub proof fn lemma_hypervisor_bit_fields(leaf: CpuIdLeaf)
    ensures
        leaf.0 == 0x01 && leaf.1 == 0 ==> {
            let r = with_hypervisor_bit(leaf);
            &&& r.5 == leaf.5 | 0x8000_0000
            &&& r.0 == leaf.0 && r.1 == leaf.1 && r.2 == leaf.2 && r.3 == leaf.3
            &&& r.4 == leaf.4 && r.6 == leaf.6
        },
        !(leaf.0 == 0x01 && leaf.1 == 0) ==> with_hypervisor_bit(leaf) == leaf,
{
    assert(1u32 << 31u32 == 0x8000_0000) by (bit_vector);
}

/// The CPUID table of vcpu `vcpu_id`: `cpuid` with the vcpu's initial APIC id.
pub fn update_cpuid(cpuid: &CpuIdTable, vcpu_id: u8) -> (r: CpuIdTable)
    ensures
        cpuid_leaves(r) == cpuid_leaves(*cpuid).map_values(|leaf| with_apic_id(leaf, vcpu_id)),
        cpuid_leaves(r).len() == cpuid_leaves(*cpuid).len(),
        forall|i: int|
            0 <= i < cpuid_leaves(r).len() && (#[trigger] cpuid_leaves(*cpuid)[i]).0 == 0x01 ==> {
                let old_leaf = cpuid_leaves(*cpuid)[i];
                let leaf = cpuid_leaves(r)[i];
                &&& leaf.4 >> 24u32 == vcpu_id as u32
                &&& leaf.4 & 0xffffff == old_leaf.4 & 0xffffff
                &&& leaf.0 == old_leaf.0 && leaf.1 == old_leaf.1 && leaf.2 == old_leaf.2
                &&& leaf.3 == old_leaf.3 && leaf.5 == old_leaf.5 && leaf.6 == old_leaf.6
            },
        forall|i: int|
            0 <= i < cpuid_leaves(r).len() && (#[trigger] cpuid_leaves(*cpuid)[i]).0 != 0x01
                ==> cpuid_leaves(r)[i] == cpuid_leaves(*cpuid)[i],
{
    let mut table = clone_cpuid(cpuid);
    let ghost before = cpuid_leaves(*cpuid);
    let mut i: usize = 0;
    loop
        invariant
            i <= before.len(),
            cpuid_leaves(table).len() == before.len(),
            forall|j: int|
                0 <= j < before.len() ==> #[trigger] cpuid_leaves(table)[j] == if j < i {
                    with_apic_id(before[j], vcpu_id)
                } else {
                    before[j]
                },
        ensures
            i == before.len(),
            forall|j: int|
                0 <= j < before.len() ==> #[trigger] cpuid_leaves(table)[j] == with_apic_id(
                    before[j],
                    vcpu_id,
                ),
        decreases before.len() - i,
    {
        let leaf = match cpuid_leaf(&table, i) {
            Some(leaf) => leaf,
            None => break,
        };
        if leaf.0 == 0x01 {
            let ebx = (leaf.4 & 0xffffff) | ((vcpu_id as u32) << 24);
            set_cpuid_leaf(&mut table, i, (leaf.0, leaf.1, leaf.2, leaf.3, ebx, leaf.5, leaf.6));
        }
        i += 1;
    }
    assert(cpuid_leaves(table) =~= before.map_values(|leaf| with_apic_id(leaf, vcpu_id)));
    assert forall|i: int| 0 <= i < before.len() && (#[trigger] before[i]).0 == 0x01 implies ({
        let l = cpuid_leaves(table)[i];
        &&& l.4 >> 24u32 == vcpu_id as u32
        &&& l.4 & 0xffffff == before[i].4 & 0xffffff
        &&& l.0 == before[i].0 && l.1 == before[i].1 && l.2 == before[i].2
        &&& l.3 == before[i].3 && l.5 == before[i].5 && l.6 == before[i].6
    }) by {
        lemma_apic_id_fields(before[i], vcpu_id);
    }
    assert forall|i: int| 0 <= i < before.len() && (#[trigger] before[i]).0 != 0x01 implies cpuid_leaves(table)[i] == before[i] by {
        lemma_apic_id_fields(before[i], vcpu_id);
    }
    table
}

/// Tells the guest that it runs under a hypervisor: sets the hypervisor bit of leaf `0x01`.
pub fn mark_hypervisor_present(cpuid: &mut CpuIdTable)
    ensures
        cpuid_leaves(*final(cpuid)) == cpuid_leaves(*old(cpuid)).map_values(
            |leaf| with_hypervisor_bit(leaf),
        ),
        cpuid_leaves(*final(cpuid)).len() == cpuid_leaves(*old(cpuid)).len(),
        forall|i: int|
            0 <= i < cpuid_leaves(*old(cpuid)).len() ==> {
                let old_leaf = #[trigger] cpuid_leaves(*old(cpuid))[i];
                let leaf = cpuid_leaves(*final(cpuid))[i];
                &&& old_leaf.0 == 0x01 && old_leaf.1 == 0 ==> leaf.5 == old_leaf.5 | 0x8000_0000
                    && leaf.0 == old_leaf.0 && leaf.1 == old_leaf.1 && leaf.2 == old_leaf.2
                    && leaf.3 == old_leaf.3 && leaf.4 == old_leaf.4 && leaf.6 == old_leaf.6
                &&& !(old_leaf.0 == 0x01 && old_leaf.1 == 0) ==> leaf == old_leaf
            },
{
    let ghost before = cpuid_leaves(*old(cpuid));
    let mut i: usize = 0;
    loop
        invariant
            i <= before.len(),
            cpuid_leaves(*cpuid).len() == before.len(),
            forall|j: int|
                0 <= j < before.len() ==> #[trigger] cpuid_leaves(*cpuid)[j] == if j < i {
                    with_hypervisor_bit(before[j])
                } else {
                    before[j]
                },
        ensures
            forall|j: int|
                0 <= j < before.len() ==> #[trigger] cpuid_leaves(*cpuid)[j]
                    == with_hypervisor_bit(before[j]),
        decreases before.len() - i,
    {
        let leaf = match cpuid_leaf(cpuid, i) {
            Some(leaf) => leaf,
            None => break,
        };
        if leaf.0 == 0x1 && leaf.1 == 0 {
            set_cpuid_leaf(cpuid, i, (leaf.0, leaf.1, leaf.2, leaf.3, leaf.4, leaf.5 | (1 << 31), leaf.6));
        }
        i += 1;
    }
    assert(cpuid_leaves(*cpuid) =~= before.map_values(|leaf| with_hypervisor_bit(leaf)));
    assert forall|i: int| 0 <= i < before.len() implies ({
        let old_leaf = #[trigger] before[i];
        let leaf = cpuid_leaves(*cpuid)[i];
        &&& old_leaf.0 == 0x01 && old_leaf.1 == 0 ==> leaf.5 == old_leaf.5 | 0x8000_0000
            && leaf.0 == old_leaf.0 && leaf.1 == old_leaf.1 && leaf.2 == old_leaf.2
            && leaf.3 == old_leaf.3 && leaf.4 == old_leaf.4 && leaf.6 == old_leaf.6
        &&& !(old_leaf.0 == 0x01 && old_leaf.1 == 0) ==> leaf == old_leaf
    }) by {
        lemma_hypervisor_bit_fields(before[i]);
    }
}

} // verus!
