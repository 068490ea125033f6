use vm_core::mm::allocator::Allocator;
use vm_core::mm::allocator::MemoryContainer;
use vm_core::mm::manager::MemoryAddressSpace;
use vm_core::mm::region::MemoryRegion;
use vm_core::mm::Error;

/// Host memory held in a boxed byte slice.
struct HeapMemory {
    bytes: Box<[u8]>,
}

impl MemoryContainer for HeapMemory {
    fn spec_hva(&self) -> usize {
        self.bytes.as_ptr() as usize
    }

    fn spec_len(&self) -> usize {
        self.bytes.len()
    }

    fn to_hva(&mut self) -> usize {
        self.bytes.as_mut_ptr() as usize
    }
}

struct HeapAllocator;

impl Allocator for HeapAllocator {
    type Container = HeapMemory;

    fn allocates(&self, len: usize, _align: Option<usize>, r: Result<HeapMemory, Error>) -> bool {
        matches!(r, Ok(m) if m.bytes.len() == len)
    }

    fn allocate(&self, len: usize, align: Option<usize>) -> Result<HeapMemory, Error> {
        assert!(align.is_none());
        Ok(HeapMemory { bytes: vec![0u8; len].into_boxed_slice() })
    }
}

struct FailingAllocator;

impl Allocator for FailingAllocator {
    type Container = HeapMemory;

    fn allocates(&self, len: usize, _align: Option<usize>, r: Result<HeapMemory, Error>) -> bool {
        matches!(r, Err(Error::AllocAnonymousMemoryFailed { len: l }) if l == len)
    }

    fn allocate(&self, len: usize, _align: Option<usize>) -> Result<HeapMemory, Error> {
        Err(Error::AllocAnonymousMemoryFailed { len })
    }
}

#[test]
fn test_memory_layout() {
    let mut memory_as = MemoryAddressSpace::<HeapMemory>::default();

    assert!(memory_as.try_insert(MemoryRegion::placeholder(0, 10)).is_ok());
    assert!(memory_as.try_insert(MemoryRegion::placeholder(5, 10)).is_err());
    assert!(memory_as.try_insert(MemoryRegion::placeholder(10, 10)).is_ok());
}

#[test]
fn test_memory_write() {
    const GPA: u64 = 0;
    const LEN: usize = 512;
    let mut memory_as = MemoryAddressSpace::<HeapMemory>::default();

    let mut region = MemoryRegion::placeholder(GPA, LEN);
    region.allocate(&HeapAllocator).unwrap();
    let hva = region.try_to_hva().unwrap();

    assert!(memory_as.try_insert(region).is_ok());

    // gpa_to_hva ok
    let addr = memory_as.gpa_to_hva(0).unwrap();
    assert_eq!(addr, hva);

    // the host address of a guest address is the region's host base plus its offset
    assert_eq!(memory_as.gpa_to_hva(7), Ok(hva + 7));
    assert_eq!(memory_as.gpa_to_hva(LEN as u64 - 1), Ok(hva + LEN - 1));

    // invalid gpa
    assert!(memory_as.gpa_to_hva(LEN as u64).is_err());

    // the checks of memset and copy_from_slice
    assert_eq!(memory_as.checked_hva_range(GPA, 1), Ok(hva));
    assert_eq!(memory_as.checked_hva_range(GPA, 512), Ok(hva));
    assert_eq!(memory_as.checked_hva_range(GPA, 513), Err(Error::MemoryOverflow));
    assert_eq!(memory_as.checked_hva_range(GPA + 1, 512), Err(Error::MemoryOverflow));
    assert_eq!(memory_as.checked_hva_range(GPA + 1, 511), Ok(hva + 1));
}

#[test]
fn rejected_region_is_handed_back() {
    let mut memory_as = MemoryAddressSpace::<HeapMemory>::default();
    assert!(memory_as.try_insert(MemoryRegion::placeholder(0x1000, 0x1000)).is_ok());
    let back = memory_as.try_insert(MemoryRegion::placeholder(0x1fff, 4)).unwrap_err();
    assert_eq!(back.gpa, 0x1fff);
    assert_eq!(back.len, 4);
    assert!(back.memory.is_none());
    assert_eq!(memory_as.regions().len(), 1);
}

#[test]
fn regions_come_in_address_order() {
    let mut memory_as = MemoryAddressSpace::<HeapMemory>::default();
    assert!(memory_as.try_insert(MemoryRegion::placeholder(0x3000, 0x100)).is_ok());
    assert!(memory_as.try_insert(MemoryRegion::placeholder(0x1000, 0x100)).is_ok());
    assert!(memory_as.try_insert(MemoryRegion::placeholder(0x2000, 0x100)).is_ok());
    let gpas: Vec<u64> = memory_as.regions().values().map(|r| r.gpa).collect();
    assert_eq!(gpas, vec![0x1000, 0x2000, 0x3000]);
}

#[test]
fn empty_region_at_same_address_replaces() {
    let mut memory_as = MemoryAddressSpace::<HeapMemory>::default();
    assert!(memory_as.try_insert(MemoryRegion::placeholder(0x1000, 0)).is_ok());
    assert!(memory_as.try_insert(MemoryRegion::placeholder(0x1000, 0x10)).is_ok());
    assert_eq!(memory_as.regions().len(), 1);
    assert_eq!(memory_as.regions()[&0x1000].len, 0x10);
}

#[test]
fn unallocated_region_errors() {
    let mut memory_as = MemoryAddressSpace::<HeapMemory>::default();
    assert!(memory_as.try_insert(MemoryRegion::placeholder(0x1000, 0x10)).is_ok());
    assert_eq!(memory_as.gpa_to_hva(0x1008), Err(Error::MemoryIsNotAllocated));
    assert_eq!(memory_as.gpa_to_hva(0x1010), Err(Error::AccessInvalidGpa(0x1010)));
    assert_eq!(memory_as.checked_hva_range(0x1000, 0x20), Err(Error::MemoryIsNotAllocated));
}

#[test]
fn region_allocates_once() {
    let mut region = MemoryRegion::<HeapMemory>::placeholder(0, 16);
    assert_eq!(region.try_to_hva(), Err(Error::MemoryIsNotAllocated));
    assert!(region.to_hva().is_none());
    assert_eq!(region.allocate(&FailingAllocator), Err(Error::AllocAnonymousMemoryFailed { len: 16 }));
    assert!(region.memory.is_none());
    assert_eq!(region.allocate(&HeapAllocator), Ok(()));
    assert_eq!(region.memory.as_ref().unwrap().bytes.len(), 16);
    assert!(region.to_hva().is_some());
    assert_eq!(region.allocate(&HeapAllocator), Err(Error::MemoryAlreadyAllocated));
}
