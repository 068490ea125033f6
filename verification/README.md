# vm-core

The core of a virtual machine monitor, as a Verus library: the parts that decide, with their
contracts proved, and a thin host layer (`app/`) that makes the system calls.

## Layout

- `src/utils/address_space.rs`: a map from disjoint address ranges to values (insert, lookup by
  address, overlap test).
- `src/mm/`: guest memory regions, their allocation through a user-supplied allocator, and the
  translation of guest addresses to host addresses.
- `src/layout/`: the fixed guest memory layout of aarch64 machines and its set-once sizes.
- `src/vcpu/`: aarch64 register names, KVM register ids, the exception syndrome register, and
  the list of vcpus of a machine.
- `src/virt/vm_exit.rs`: decoding a data abort into a device access, and the value a device read
  puts into a register.
- `src/virtualization/`: the interrupt controller placement of the Apple hypervisor, the exits of
  its vcpus, the snapshots of their registers and of the interrupt controller, the step
  function of a vcpu thread (with the law that a vcpu runs only after a resume), the
  interrupt number allocator, machine states, KVM interrupt routing and CPUID tables.
- `app/`: mmap-backed memory, KVM ioctls, the Hypervisor framework calls, the vcpu threads that
  run the library's step function, and the serde and `Display` forms of the library's types.
- `tests/`: tests of the library.

Laws that span several calls (lookup after insert, disjointness of ranges, distinct interrupt
numbers, the round trip of device write bytes, ...) are public proof functions next to the code
they speak of.
