use vstd::arithmetic::div_mod::lemma_breakdown;
use vstd::prelude::*;

use crate::vcpu::arch::aarch64::reg::esr_el2::Ec;
use crate::vcpu::arch::aarch64::reg::esr_el2::EsrEl2;
use crate::vcpu::arch::aarch64::reg::esr_el2::UnknownEc;
use crate::vcpu::arch::aarch64::reg::srt_register;
use crate::vcpu::arch::aarch64::reg::srt_supported;
use crate::vcpu::arch::aarch64::reg::CoreRegister;

verus! {

/// Errors of handling a vm exit.
#[derive(Debug, Clone, PartialEq, Eq)]
pub enum Error {
    /// A device access failed, for this reason.
    MmioErr(String),
}

/// The direction of a device access.
#[derive(Debug, Clone, Copy, PartialEq, Eq, Structural)]
pub enum Rw {
    /// A write of this data.
    Write(u64),
    /// A read into the register with this id.
    Read(u64),
}

/// Why a vcpu stopped running guest code.
#[derive(Debug)]
pub enum VmExitReason {
    Unknown,
    /// The guest reads `len` bytes of device memory at `gpa` into register `srt`.
    MMIORead { gpa: u64, srt: CoreRegister, len: usize },
    /// The guest writes the `len` bytes of `buf` to device memory at `gpa`.
    MMIOWrite { gpa: u64, buf: Vec<u8>, len: usize },
}

/// What to do once a vm exit has been handled.
#[derive(Debug, Clone, Copy, PartialEq, Eq, Structural)]
pub enum HandleVmExitResult {
    Continue,
}

/// What the syndrome of a data abort tells about the access.
#[derive(Debug, Clone, Copy, PartialEq, Eq, Structural)]
pub struct DataAbort {
    /// The guest writes (else it reads).
    pub is_write: bool,
    /// The access size in bytes: 1, 2, 4 or 8.
    pub len: usize,
    /// The register that holds the data, or receives it.
    pub srt: u64,
    /// The faulting instruction is a 32-bit one.
    pub is_32bit_inst: bool,
}

/// The exception class field (bits 26..32) of the syndrome `esr`.
pub open spec fn ec_of(esr: u64) -> u64 {
    (esr >> 26u64) & 0x3f
}

/// The syndrome holds a valid instruction syndrome (its ISV bit, bit 24 of the ISS, is set).
pub open spec fn syndrome_valid(esr: u64) -> bool {
    ((esr & 0x1ffffff) >> 24u64) & 0x1 != 0
}

/// The access size that a data abort's SAS field (bits 22..24 of the ISS) encodes.
pub open spec fn access_size(esr: u64) -> usize {
    let sas = ((esr & 0x1ffffff) >> 22u64) & 0x3;
    if sas == 0 {
        1
    } else if sas == 1 {
        2
    } else if sas == 2 {
        4
    } else {
        8
    }
}

/// The data abort that the syndrome `esr` describes.
pub open spec fn data_abort_of(esr: u64) -> DataAbort {
    DataAbort {
        is_write: ((esr & 0x1ffffff) >> 6u64) & 0x1 != 0,
        len: access_size(esr),
        srt: ((esr & 0x1ffffff) >> 16u64) & 0x1f,
        is_32bit_inst: (esr >> 25u64) & 0x1 != 0,
    }
}

/// The `len` low bytes of `data`, least significant first.
pub open spec fn le_bytes(data: u64, len: nat) -> Seq<u8> {
    Seq::new(len, |i: int| ((data >> (8 * i) as u64) & 0xff) as u8)
}

/// `256` to the power `n`.
pub open spec fn pow256(n: nat) -> nat
    decreases n,
{
    if n == 0 {
        1
    } else {
        256 * pow256((n - 1) as nat)
    }
}

/// The number that `bytes` spell, least significant byte first.
pub open spec fn le_value(bytes: Seq<u8>) -> nat
    decreases bytes.len(),
{
    if bytes.len() == 0 {
        0
    } else {
        bytes[0] as nat + 256 * le_value(bytes.drop_first())
    }
}

proof fn lemma_le_value_bound(bytes: Seq<u8>)
    ensures
        le_value(bytes) < pow256(bytes.len()),
    decreases bytes.len(),
{
    if bytes.len() > 0 {
        lemma_le_value_bound(bytes.drop_first());
    }
}

proof fn lemma_pow256_monotone(m: nat, n: nat)
    requires
        m <= n,
    ensures
        pow256(m) <= pow256(n),
    decreases n,
{
    if m < n {
        lemma_pow256_monotone(m, (n - 1) as nat);
    }
}

/// The value that a device read of `bytes` puts into the register that receives it: the bytes
/// zero-extended to 8 and read least significant first.
pub fn mmio_read_value(bytes: &[u8]) -> (r: u64)
    requires
        bytes@.len() <= 8,
    ensures
        r == le_value(bytes@),
{
    let ghost s = bytes@;
    let mut v: u64 = 0;
    let mut i: usize = bytes.len();
    assert(s.subrange(i as int, s.len() as int) =~= Seq::<u8>::empty());
    while i > 0
        invariant
            s == bytes@,
            i <= s.len() <= 8,
            v == le_value(s.subrange(i as int, s.len() as int)),
        decreases i,
    {
        let ghost rest = s.subrange(i as int, s.len() as int);
        proof {
            lemma_le_value_bound(rest);
            lemma_pow256_monotone(rest.len(), 7);
            reveal_with_fuel(pow256, 8);
        }
        i -= 1;
        v = v * 256 + bytes[i] as u64;
        assert(s.subrange(i as int, s.len() as int).drop_first() =~= rest);
    }
    assert(s.subrange(0, s.len() as int) =~= s);
    v
}

/// The bytes that a device write of the `len` low bytes of `data` sends, read back as a
/// value, are those low bytes of `data`.
pub proof fn lemma_mmio_round_trip(data: u64, len: nat)
    requires
        len <= 8,
    ensures
        le_value(le_bytes(data, len)) == (data as nat) % pow256(len),
    decreases len,
{
    if len > 0 {
        let bytes = le_bytes(data, len);
        let high = data >> 8u64;
        lemma_mmio_round_trip(high, (len - 1) as nat);
        assert forall|i: int| 0 <= i < len - 1 implies #[trigger] bytes.drop_first()[i] == le_bytes(
            high,
            (len - 1) as nat,
        )[i] by {
            let k = i as u64;
            assert((data >> (8u64 * (k + 1))) == ((data >> 8u64) >> (8u64 * k))) by (bit_vector)
                requires
                    k < 7,
            ;
            assert((8 * (i + 1)) as u64 == 8u64 * (k + 1));
            assert((8 * i) as u64 == 8u64 * k);
        }
        assert(bytes.drop_first() =~= le_bytes(high, (len - 1) as nat));
        assert((data & 0xff) == data % 256 && (data >> 8u64) == data / 256 && (data >> 0u64)
            == data) by (bit_vector);
        assert(bytes[0] == (data & 0xff) as u8);
        assert(pow256((len - 1) as nat) > 0) by {
            lemma_pow256_monotone(0, (len - 1) as nat);
        }
        lemma_breakdown(data as int, 256, pow256((len - 1) as nat) as int);
    }
}

/// The fields of a data abort, read off the syndrome `esr`: the transfer register is bits
/// 16..21, the direction bit 6, the access size `2^SAS` bytes with SAS in bits 22..24, and the
/// instruction length bit 25.
pub proof fn lemma_data_abort_fields(esr: u64)
    ensures
        data_abort_of(esr).srt == (esr >> 16u64) & 0x1f,
        data_abort_of(esr).is_write == ((esr >> 6u64) & 0x1 == 1),
        data_abort_of(esr).len as u64 == 1u64 << ((esr >> 22u64) & 0x3),
        data_abort_of(esr).is_32bit_inst == ((esr >> 25u64) & 0x1 == 1),
{
    assert(((esr & 0x1ffffff) >> 16u64) & 0x1f == (esr >> 16u64) & 0x1f) by (bit_vector);
    assert((((esr & 0x1ffffff) >> 6u64) & 0x1 != 0) == ((esr >> 6u64) & 0x1 == 1)) by (bit_vector);
    assert(((esr & 0x1ffffff) >> 22u64) & 0x3 == (esr >> 22u64) & 0x3) by (bit_vector);
    assert((esr >> 22u64) & 0x3 <= 3) by (bit_vector);
    assert(1u64 << 0u64 == 1 && 1u64 << 1u64 == 2 && 1u64 << 2u64 == 4 && 1u64 << 3u64 == 8)
        by (bit_vector);
    assert(((esr >> 25u64) & 0x1 != 0) == ((esr >> 25u64) & 0x1 == 1)) by (bit_vector);
}

/// Decodes the syndrome of a data abort.
pub fn decode_data_abort(esr: &EsrEl2) -> (r: DataAbort)
    requires
        syndrome_valid(esr.value()),
    ensures
        r == data_abort_of(esr.value()),
        r.srt < 32,
        r.srt == (esr.value() >> 16u64) & 0x1f,
        r.is_write == ((esr.value() >> 6u64) & 0x1 == 1),
        r.len as u64 == 1u64 << ((esr.value() >> 22u64) & 0x3),
        r.is_32bit_inst == ((esr.value() >> 25u64) & 0x1 == 1),
{
    proof {
        lemma_data_abort_fields(esr.value());
    }
    let iss = esr.iss();
    let is_write = (iss >> 6) & 0x1 != 0;
    let sas = (iss >> 22) & 0x3;
    let len: usize = if sas == 0 {
        1
    } else if sas == 1 {
        2
    } else if sas == 2 {
        4
    } else {
        8
    };
    let srt = (iss >> 16) & 0x1f;
    assert(((iss >> 16u64) & 0x1f) < 32) by (bit_vector);
    DataAbort { is_write, len, srt, is_32bit_inst: esr.il() }
}

/// The device access of a data abort at `gpa`, where `data` is what the abort's register
/// holds.
pub fn mmio_exit(gpa: u64, abort: &DataAbort, data: u64) -> (r: VmExitReason)
    requires
        abort.len <= 8,
        !abort.is_write ==> srt_supported(abort.srt),
    ensures
        abort.is_write ==> (r matches VmExitReason::MMIOWrite { gpa: g, buf, len } && g == gpa
            && len == abort.len && buf@ == le_bytes(data, abort.len as nat)),
        abort.is_write ==> (r matches VmExitReason::MMIOWrite { buf, .. } && buf@.len()
            == abort.len && forall|i: int|
            0 <= i < abort.len ==> #[trigger] buf@[i] as u64 == (data >> (8 * i) as u64) & 0xff),
        !abort.is_write ==> (r matches VmExitReason::MMIORead { gpa: g, srt, len } && g == gpa
            && len == abort.len && srt == srt_register(abort.srt)),
{
    if abort.is_write {
        let mut buf: Vec<u8> = Vec::new();
        let mut i: usize = 0;
        while i < abort.len
            invariant
                i <= abort.len <= 8,
                buf@ == le_bytes(data, i as nat),
            decreases abort.len - i,
        {
            let shift: u64 = 8 * i as u64;
            let b: u64 = (data >> shift) & 0xff;
            assert(((data >> shift) & 0xff) <= 0xff) by (bit_vector);
            buf.push(b as u8);
            assert(buf@ =~= le_bytes(data, (i + 1) as nat));
            i += 1;
        }
        assert forall|k: int| 0 <= k < abort.len implies #[trigger] buf@[k] as u64 == (data >> (8
            * k) as u64) & 0xff by {
            let sh = (8 * k) as u64;
            assert((data >> sh) & 0xff <= 0xff) by (bit_vector);
        }
        VmExitReason::MMIOWrite { gpa, buf, len: abort.len }
    } else {
        VmExitReason::MMIORead { gpa, srt: CoreRegister::from_srt(abort.srt), len: abort.len }
    }
}

/// Why a vcpu stopped, from the syndrome `esr` and fault address `far` of the exception it
/// took; `data` is what the register that the syndrome names holds (read only for data
/// aborts).
pub fn to_vm_exit(esr: &EsrEl2, far: u64, data: u64) -> (r: Result<VmExitReason, UnknownEc>)
    requires
        ec_of(esr.value()) == 0x24 ==> syndrome_valid(esr.value()) && (!data_abort_of(
            esr.value(),
        ).is_write ==> srt_supported(data_abort_of(esr.value()).srt)),
    ensures
        ec_of(esr.value()) != 0x00 && ec_of(esr.value()) != 0x24 ==> r == Err::<
            VmExitReason,
            UnknownEc,
        >(UnknownEc(ec_of(esr.value()) as u8)),
        ec_of(esr.value()) == 0x00 ==> r matches Ok(VmExitReason::Unknown),
        ec_of(esr.value()) == 0x24 && data_abort_of(esr.value()).is_write ==> (r matches Ok(
            VmExitReason::MMIOWrite { gpa, buf, len },
        ) && gpa == far && len == data_abort_of(esr.value()).len && buf@ == le_bytes(
            data,
            data_abort_of(esr.value()).len as nat,
        )),
        ec_of(esr.value()) == 0x24 && !data_abort_of(esr.value()).is_write ==> (r matches Ok(
            VmExitReason::MMIORead { gpa, srt, len },
        ) && gpa == far && len == data_abort_of(esr.value()).len && srt == srt_register(
            data_abort_of(esr.value()).srt,
        )),
{
    match esr.ec()? {
        Ec::Unknown => Ok(VmExitReason::Unknown),
        Ec::DA => {
            let abort = decode_data_abort(esr);
            Ok(mmio_exit(far, &abort, data))
        },
    }
}

} // verus!
